//! End-to-end message encryption with a shared passphrase.
//!
//! The key is the SHA-256 digest of the passphrase. A message is sealed with
//! AES-256-GCM under a fresh random 96-bit nonce, and travels as
//! `base64(nonce || ciphertext || tag)`.

use vstd::prelude::*;
use vstd::utf8::*;
use vstd::string::*;
use aes_gcm::aead::{Aead, KeyInit, rand_core::RngCore};
use aes_gcm::{Aes256Gcm, Nonce};
use base64::Engine as _;
use sha2::Digest;

verus! {

broadcast use vstd::utf8::encode_utf8_valid_utf8, vstd::utf8::encode_utf8_decode_utf8;

/// Length in bytes of the nonce that prefixes every encrypted message.
pub const NONCE_LEN: usize = 12;

/// Length in bytes of a key derived from a passphrase.
pub const KEY_LEN: usize = 32;

/// The largest plaintext, in bytes, that AES-GCM accepts.
pub open spec fn max_plaintext_len() -> nat {
    68719476736
}

/// SHA-256 digest of a byte sequence.
pub uninterp spec fn sha256_digest(data: Seq<u8>) -> Seq<u8>;

/// AES-256-GCM sealing (ciphertext followed by the tag), without associated data.
pub uninterp spec fn aes256gcm_seal(key: Seq<u8>, nonce: Seq<u8>, plaintext: Seq<u8>) -> Seq<u8>;

/// AES-256-GCM opening, without associated data: `None` when the tag does not verify.
pub uninterp spec fn aes256gcm_open(key: Seq<u8>, nonce: Seq<u8>, ciphertext: Seq<u8>) -> Option<Seq<u8>>;

/// Standard base64 encoding (with padding) of a byte sequence.
pub uninterp spec fn base64_encoding(data: Seq<u8>) -> Seq<char>;

/// Standard base64 decoding of the bytes of a text: the data, or the
/// description of the error when the text is not valid base64.
pub uninterp spec fn base64_decoding(text: Seq<u8>) -> Result<Seq<u8>, Seq<char>>;

/// A successful decoding that gives `data`.
pub open spec fn decoded(data: Seq<u8>) -> Result<Seq<u8>, Seq<char>> {
    Ok(data)
}

/// A failed decoding, with the error's description.
pub open spec fn undecodable(description: Seq<char>) -> Result<Seq<u8>, Seq<char>> {
    Err(description)
}

/// The description of the error that `String::from_utf8` reports for bytes
/// that are not valid UTF-8.
pub uninterp spec fn utf8_error_text(bytes: Seq<u8>) -> Seq<char>;

/// Calls `sha2::Sha256::digest`: the result is the digest named by
/// `sha256_digest`, 32 bytes long.
#[verifier::external_body]
pub(crate) fn sha256(data: &[u8]) -> (digest: Vec<u8>)
    ensures
        digest@ == sha256_digest(data@),
        digest@.len() == KEY_LEN,
{
    sha2::Sha256::digest(data).to_vec()
}

/// Calls `Aes256Gcm::new_from_slice` and `Aead::encrypt` of `aes-gcm`.
/// The source refuses only plaintexts longer than 2^36 bytes; otherwise the
/// ciphertext is the sealing named by `aes256gcm_seal`, 16 bytes longer than
/// the plaintext, and opening it with the same key and nonce gives the
/// plaintext back (the round trip that the crate's documentation shows).
#[verifier::external_body]
fn aes256gcm_encrypt(key: &[u8], nonce: &[u8], plaintext: &[u8]) -> (sealed: Option<Vec<u8>>)
    requires
        key@.len() == KEY_LEN,
        nonce@.len() == NONCE_LEN,
    ensures
        sealed is Some <==> plaintext@.len() <= max_plaintext_len(),
        sealed matches Some(c) ==> c@ == aes256gcm_seal(key@, nonce@, plaintext@),
        sealed matches Some(c) ==> c@.len() == plaintext@.len() + 16,
        sealed matches Some(c) ==> aes256gcm_open(key@, nonce@, c@) == Some(plaintext@),
{
    let cipher = Aes256Gcm::new_from_slice(key).unwrap();
    cipher.encrypt(Nonce::from_slice(nonce), plaintext).ok()
}

/// Calls `Aes256Gcm::new_from_slice` and `Aead::decrypt` of `aes-gcm`: the
/// result is the opening named by `aes256gcm_open`.
#[verifier::external_body]
fn aes256gcm_decrypt(key: &[u8], nonce: &[u8], ciphertext: &[u8]) -> (opened: Option<Vec<u8>>)
    requires
        key@.len() == KEY_LEN,
        nonce@.len() == NONCE_LEN,
    ensures
        match opened {
            Some(p) => aes256gcm_open(key@, nonce@, ciphertext@) == Some(p@),
            None => aes256gcm_open(key@, nonce@, ciphertext@) is None,
        },
{
    let cipher = Aes256Gcm::new_from_slice(key).unwrap();
    cipher.decrypt(Nonce::from_slice(nonce), ciphertext).ok()
}

/// Calls `RngCore::fill_bytes` on `rand::thread_rng()`: the bytes are random,
/// so only the length, which does not change, is stated. It can panic if the
/// operating system's random source fails, which no argument causes.
#[verifier::external_body]
fn fill_random(buf: &mut Vec<u8>)
    ensures
        final(buf)@.len() == old(buf)@.len(),
{
    rand::thread_rng().fill_bytes(buf.as_mut_slice());
}

/// A character of the standard base64 alphabet, or the padding `=`.
pub open spec fn is_base64_char(c: char) -> bool {
    ('A' <= c && c <= 'Z') || ('a' <= c && c <= 'z') || ('0' <= c && c <= '9') || c == '+' || c == '/' || c == '='
}

/// Calls `Engine::encode` of `base64::engine::general_purpose::STANDARD`:
/// the text is the encoding named by `base64_encoding`, four characters
/// of the base64 alphabet for every three bytes begun (padded), and
/// decoding its bytes gives the data back.
#[verifier::external_body]
fn base64_encode(data: &[u8]) -> (text: String)
    ensures
        text@ == base64_encoding(data@),
        base64_decoding(encode_utf8(text@)) == decoded(data@),
        text@.len() == 4 * ((data@.len() + 2) / 3),
        forall|i: int| 0 <= i < text@.len() ==> is_base64_char(#[trigger] text@[i]),
{
    base64::engine::general_purpose::STANDARD.encode(data)
}

/// Calls `Engine::decode` of `base64::engine::general_purpose::STANDARD` on
/// the bytes of `text`: the data, or the error's description, is the
/// decoding named by `base64_decoding`.
#[verifier::external_body]
fn base64_decode(text: &str) -> (data: Result<Vec<u8>, String>)
    ensures
        match data {
            Ok(d) => base64_decoding(text.spec_bytes()) == decoded(d@),
            Err(e) => base64_decoding(text.spec_bytes()) == undecodable(e@),
        },
{
    base64::engine::general_purpose::STANDARD.decode(text).map_err(|e| e.to_string())
}

/// Calls `String::from_utf8`: it succeeds exactly on valid UTF-8 and then
/// holds the decoded characters; otherwise the error's description is the
/// one named by `utf8_error_text`.
#[verifier::external_body]
fn string_from_utf8(bytes: Vec<u8>) -> (text: Result<String, String>)
    ensures
        text is Ok <==> valid_utf8(bytes@),
        text matches Ok(t) ==> t@ == decode_utf8(bytes@),
        text matches Err(e) ==> e@ == utf8_error_text(bytes@),
{
    String::from_utf8(bytes).map_err(|e| e.to_string())
}

/// The text that `Crypto::encrypt` produces from a key, a nonce and a message.
pub open spec fn sealed_message(key: Seq<u8>, nonce: Seq<u8>, message: Seq<char>) -> Seq<char> {
    base64_encoding(nonce + aes256gcm_seal(key, nonce, encode_utf8(message)))
}

/// What decrypting a received text with a key gives: the message, or the
/// error that names the first stage that refused it.
pub open spec fn decryption(key: Seq<u8>, encrypted: Seq<char>) -> Result<Seq<char>, Seq<char>> {
    match base64_decoding(encode_utf8(encrypted)) {
        Err(detail) => Err("Base64 decode failed: "@ + detail),
        Ok(data) => if data.len() < NONCE_LEN {
            Err("Invalid encrypted data: too short"@)
        } else {
            match aes256gcm_open(key, data.take(NONCE_LEN as int), data.skip(NONCE_LEN as int)) {
                None => Err("Decryption failed: aead::Error"@),
                Some(plain) => if valid_utf8(plain) {
                    Ok(decode_utf8(plain))
                } else {
                    Err("UTF-8 decode failed: "@ + utf8_error_text(plain))
                },
            }
        },
    }
}

/// A cipher for one shared passphrase.
pub struct Crypto {
    key: Vec<u8>,
}

impl Crypto {
    /// The 32-byte key.
    pub closed spec fn key(&self) -> Seq<u8> {
        self.key@
    }

    /// The key is 32 bytes long.
    #[verifier::type_invariant]
    closed spec fn key_is_full_length(&self) -> bool {
        self.key@.len() == KEY_LEN
    }

    /// Creates a cipher from a passphrase: the key is the SHA-256 digest of
    /// the passphrase's UTF-8 bytes.
    pub fn new(passphrase: &str) -> (crypto: Self)
        ensures
            crypto.key() == sha256_digest(passphrase.spec_bytes()),
    {
        Crypto { key: sha256(passphrase.as_bytes()) }
    }

    /// Seals a message under a given 12-byte nonce: `base64(nonce ||
    /// ciphertext || tag)`, where the sealing is 16 bytes longer than the
    /// message's UTF-8 bytes. Fails, with "Encryption failed: aead::Error",
    /// exactly when the message is longer than AES-GCM accepts. Decrypting
    /// the result with the same key gives the message back.
    pub fn seal_with_nonce(&self, nonce: &[u8], plaintext: &str) -> (result: Result<String, String>)
        requires
            nonce@.len() == NONCE_LEN,
        ensures
            result is Err <==> plaintext.spec_bytes().len() > max_plaintext_len(),
            result matches Err(e) ==> e@ == "Encryption failed: aead::Error"@,
            result matches Ok(text) ==> text@ == sealed_message(self.key(), nonce@, plaintext@),
            result matches Ok(text) ==> text@.len() == 4 * ((encode_utf8(plaintext@).len() + NONCE_LEN + 16 + 2) / 3),
            result matches Ok(text) ==> forall|i: int| 0 <= i < text@.len() ==> is_base64_char(#[trigger] text@[i]),
            result matches Ok(text) ==> base64_decoding(encode_utf8(text@)) == decoded(
                nonce@ + aes256gcm_seal(self.key(), nonce@, encode_utf8(plaintext@)),
            ),
            result matches Ok(text) ==> aes256gcm_seal(self.key(), nonce@, encode_utf8(plaintext@)).len()
                == encode_utf8(plaintext@).len() + 16,
            result matches Ok(text) ==> decryption(self.key(), text@) == Ok::<Seq<char>, Seq<char>>(plaintext@),
    {
        proof {
            use_type_invariant(self);
        }
        let bytes = plaintext.as_bytes();
        match aes256gcm_encrypt(self.key.as_slice(), nonce, bytes) {
            None => Err(String::from_str("Encryption failed: aead::Error")),
            Some(sealed) => {
                let ghost n = nonce@;
                let mut combined: Vec<u8> = Vec::new();
                let mut j: usize = 0;
                while j < nonce.len()
                    invariant
                        j <= n.len(),
                        n == nonce@,
                        combined@ == n.take(j as int),
                    decreases n.len() - j,
                {
                    combined.push(nonce[j]);
                    j = j + 1;
                    assert(n.take(j as int) == n.take(j - 1).push(n[j - 1]));
                }
                assert(n.take(n.len() as int) == n);
                let mut i: usize = 0;
                while i < sealed.len()
                    invariant
                        i <= sealed@.len(),
                        combined@ == n + sealed@.take(i as int),
                    decreases sealed@.len() - i,
                {
                    combined.push(sealed[i]);
                    i = i + 1;
                    assert(sealed@.take(i as int) == sealed@.take(i - 1).push(sealed@[i - 1]));
                }
                assert(sealed@.take(sealed@.len() as int) == sealed@);
                let text = base64_encode(combined.as_slice());
                proof {
                    let data = combined@;
                    assert(data.take(NONCE_LEN as int) == n);
                    assert(data.skip(NONCE_LEN as int) == sealed@);
                    assert(text@ == sealed_message(self.key(), n, plaintext@));
                }
                Ok(text)
            },
        }
    }

    /// Encrypts a message under a fresh random 12-byte nonce: the result is
    /// what `seal_with_nonce` gives for the nonce drawn. Fails, with
    /// "Encryption failed: aead::Error", exactly when the message is longer
    /// than AES-GCM accepts. Whatever nonce was drawn, decoding the text
    /// gives the nonce followed by the sealing, and decrypting it with the
    /// same key gives the message back.
    pub fn encrypt(&self, plaintext: &str) -> (result: Result<String, String>)
        ensures
            result is Err <==> plaintext.spec_bytes().len() > max_plaintext_len(),
            result matches Err(e) ==> e@ == "Encryption failed: aead::Error"@,
            result matches Ok(text) ==> exists|nonce: Seq<u8>|
                nonce.len() == NONCE_LEN && text@ == #[trigger] sealed_message(self.key(), nonce, plaintext@)
                    && base64_decoding(encode_utf8(text@)) == decoded(
                    nonce + aes256gcm_seal(self.key(), nonce, encode_utf8(plaintext@)),
                ) && aes256gcm_seal(self.key(), nonce, encode_utf8(plaintext@)).len() == encode_utf8(
                    plaintext@,
                ).len() + 16,
            result matches Ok(text) ==> text@.len() == 4 * ((encode_utf8(plaintext@).len() + NONCE_LEN + 16 + 2) / 3),
            result matches Ok(text) ==> forall|i: int| 0 <= i < text@.len() ==> is_base64_char(#[trigger] text@[i]),
            result matches Ok(text) ==> decryption(self.key(), text@) == Ok::<Seq<char>, Seq<char>>(plaintext@),
    {
        let mut nonce: Vec<u8> = vec![0u8; NONCE_LEN];
        fill_random(&mut nonce);
        let result = self.seal_with_nonce(nonce.as_slice(), plaintext);
        proof {
            if result is Ok {
                assert(result->Ok_0@ == sealed_message(self.key(), nonce@, plaintext@));
            }
        }
        result
    }

    /// Decrypts a text made by `encrypt` with the same passphrase. The result
    /// is the message when every stage succeeds, and otherwise an error that
    /// names the first stage that failed: base64 decoding, a payload shorter
    /// than the nonce, authentication, or UTF-8 decoding.
    pub fn decrypt(&self, encrypted: &str) -> (result: Result<String, String>)
        ensures
            match decryption(self.key(), encrypted@) {
                Ok(message) => result matches Ok(text) && text@ == message,
                Err(error) => result matches Err(e) && e@ == error,
            },
    {
        proof {
            use_type_invariant(self);
        }
        let data = match base64_decode(encrypted) {
            Ok(d) => d,
            Err(detail) => {
                let mut e = String::from_str("Base64 decode failed: ");
                e.append(detail.as_str());
                return Err(e);
            },
        };
        if data.len() < NONCE_LEN {
            return Err(String::from_str("Invalid encrypted data: too short"));
        }
        let mut nonce: Vec<u8> = Vec::new();
        let mut ciphertext: Vec<u8> = Vec::new();
        let mut i: usize = 0;
        while i < data.len()
            invariant
                i <= data@.len(),
                NONCE_LEN <= data@.len(),
                i <= NONCE_LEN ==> nonce@ == data@.take(i as int) && ciphertext@.len() == 0,
                i > NONCE_LEN ==> nonce@ == data@.take(NONCE_LEN as int)
                    && ciphertext@ == data@.subrange(NONCE_LEN as int, i as int),
            decreases data@.len() - i,
        {
            if i < NONCE_LEN {
                nonce.push(data[i]);
                assert(data@.take(i + 1) == data@.take(i as int).push(data@[i as int]));
            } else {
                ciphertext.push(data[i]);
                assert(data@.subrange(NONCE_LEN as int, i + 1) == data@.subrange(NONCE_LEN as int, i as int).push(data@[i as int]));
            }
            i = i + 1;
        }
        assert(ciphertext@ == data@.skip(NONCE_LEN as int));
        let plain = match aes256gcm_decrypt(self.key.as_slice(), nonce.as_slice(), ciphertext.as_slice()) {
            Some(p) => p,
            None => return Err(String::from_str("Decryption failed: aead::Error")),
        };
        match string_from_utf8(plain) {
            Ok(text) => Ok(text),
            Err(detail) => {
                let mut e = String::from_str("UTF-8 decode failed: ");
                e.append(detail.as_str());
                Err(e)
            },
        }
    }
}

/// Law: two ciphers made from one passphrase behave alike: they decrypt
/// every text to the same result, and seal every message under a given
/// nonce to the same text.
pub proof fn one_passphrase_one_cipher(
    c1: Crypto,
    c2: Crypto,
    passphrase: Seq<u8>,
    encrypted: Seq<char>,
    nonce: Seq<u8>,
    message: Seq<char>,
)
    requires
        c1.key() == sha256_digest(passphrase),
        c2.key() == sha256_digest(passphrase),
    ensures
        decryption(c1.key(), encrypted) == decryption(c2.key(), encrypted),
        sealed_message(c1.key(), nonce, message) == sealed_message(c2.key(), nonce, message),
{
}

} // verus!
